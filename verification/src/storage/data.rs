//! The records of the store and their integer encoding.

use crate::client::config::UseCacheConfig;
use crate::utils::decimal::decimal;
use crate::utils::decimal::signed_decimal;
use crate::utils::decimal::to_decimal;
use crate::utils::decimal::to_signed_decimal;
use crate::utils::json::json_string;
use crate::utils::json::to_json_string;
use crate::utils::time::TimeSpan;
use crate::utils::time::Timestamp;
use vstd::prelude::*;
use vstd::string::StringExecFns;

verus! {

/// The largest count that an integer column of the store holds.
pub const COLUMN_MAX: u128 = 0x7fff_ffff_ffff_ffff;

/// Name of the column that holds the time at which a name became current.
pub const COLUMN_CHANGED_TO_AT: &'static str = "changedToAt";

/// Name of the column that holds the time of the last check.
pub const COLUMN_UPDATE: &'static str = "update";

/// Creates the table of names where it is missing: one row for each name an
/// account took, numbered in the order in which the rows were written.
pub const CREATE_TABLE_NAMES: &'static str =
    "CREATE TABLE IF NOT EXISTS `names` (
    \"index\"	INTEGER NOT NULL UNIQUE,
    \"uuid\"	BLOB NOT NULL,
    \"name\"	TEXT NOT NULL,
    \"changedToAt\"	INTEGER,
    \"source\"	INTEGER NOT NULL DEFAULT 0,
    PRIMARY KEY(\"index\" AUTOINCREMENT)
)
";

/// Creates the index of the table of names by account where it is missing.
pub const CREATE_INDEX_NAMES: &'static str =
    "CREATE INDEX IF NOT EXISTS `names_index_uuid` ON `names`(\"uuid\")";

/// Reads the names of one account, ordered by their time of change, a name
/// without one first.
pub const QUERY_NAME_HISTORY: &'static str =
    "SELECT \"name\", \"changedToAt\"
FROM `names`
WHERE \"uuid\" = ?
ORDER BY \"changedToAt\"
";

/// Appends a name with its time of change.
pub const INSERT_NAME: &'static str =
    "INSERT INTO `names`
(\"uuid\", \"name\", \"changedToAt\", \"source\")
VALUES (?, ?, ?, ?)
";

/// Appends a name without a time of change.
pub const INSERT_FIRST_NAME: &'static str =
    "INSERT INTO `names`
(\"uuid\", \"name\", \"source\")
VALUES (?, ?, ?)
";

/// Creates the table of checks where it is missing: at most one row for each
/// account.
pub const CREATE_TABLE_UPDATES: &'static str =
    "CREATE TABLE IF NOT EXISTS `updates` (
    \"uuid\"	BLOB NOT NULL UNIQUE,
    \"update\"	INTEGER NOT NULL,
    \"changed\"	BOOLEAN NOT NULL,
    PRIMARY KEY(\"uuid\")
)
";

/// Creates the index of the table of checks by account where it is missing.
pub const CREATE_INDEX_UPDATES: &'static str =
    "CREATE INDEX IF NOT EXISTS `updates_index_uuid` ON `updates`(\"uuid\")";

/// Reads the record of the last check of one account.
pub const QUERY_UPDATE: &'static str =
    "SELECT \"update\", \"changed\"
FROM `updates`
WHERE \"uuid\" = ?
";

/// Overwrites the record of the last check of one account.
pub const REFRESH_UPDATE: &'static str =
    "UPDATE `updates`
SET \"update\" = ?, \"changed\" = ?
WHERE \"uuid\" = ?
";

/// Writes the first record of a check of one account.
pub const NEW_UPDATE: &'static str =
    "INSERT INTO `updates`
VALUES(?, ?, ?)
";

/// A count that does not stand for a point in time, or a point in time
/// that no column can hold. Holds the offending value.
#[derive(Debug)]
pub struct SystemTimeTransformationError<T>(pub T);

/// What stands before the value in the message of a
/// `SystemTimeTransformationError`.
pub const MESSAGE_HEAD: &'static str = "SystemTimeTransformationError[timestamp = ";

/// What stands behind the value in the message of a
/// `SystemTimeTransformationError`.
pub const MESSAGE_TAIL: &'static str = "]";

impl SystemTimeTransformationError<i64> {
    /// The message of the error: the offending count between the head and
    /// the tail.
    pub fn message(&self) -> (text: String)
        ensures
            text@ == MESSAGE_HEAD@ + signed_decimal(self.0 as int) + MESSAGE_TAIL@,
    {
        let value = to_signed_decimal(self.0);
        String::from_str(MESSAGE_HEAD).concat(value.as_str()).concat(MESSAGE_TAIL)
    }
}

impl SystemTimeTransformationError<u128> {
    /// The message of the error: the offending count between the head and
    /// the tail.
    pub fn message(&self) -> (text: String)
        ensures
            text@ == MESSAGE_HEAD@ + decimal(self.0 as nat) + MESSAGE_TAIL@,
    {
        let value = to_decimal(self.0);
        String::from_str(MESSAGE_HEAD).concat(value.as_str()).concat(MESSAGE_TAIL)
    }
}

/// A column of a stored row that could not be read.
#[derive(Debug)]
pub struct ColumnDecode {
    /// Name of the column.
    pub index: String,
    /// What was wrong with its value.
    pub source: SystemTimeTransformationError<i64>,
}

/// A `ColumnDecode` with the column's name as a sequence of characters.
pub struct ColumnDecodeView {
    pub index: Seq<char>,
    pub raw: i64,
}

impl View for ColumnDecode {
    type V = ColumnDecodeView;

    open spec fn view(&self) -> ColumnDecodeView {
        ColumnDecodeView { index: self.index@, raw: self.source.0 }
    }
}

/// The failure to read the time `raw` from the column `index`.
pub fn systemtime_error(index: &str, raw: i64) -> (e: ColumnDecode)
    ensures
        e@ == (ColumnDecodeView { index: index@, raw }),
{
    ColumnDecode { index: index.to_owned(), source: SystemTimeTransformationError(raw) }
}

/// The bytes under which the account `v` is stored: the sixteen bytes of
/// the number, most significant first.
pub open spec fn spec_into_argument_uuid(v: u128) -> Seq<u8> {
    big_endian(v as nat, 16)
}

/// The last `len` base-256 digits of `v`, most significant first.
pub open spec fn big_endian(v: nat, len: nat) -> Seq<u8>
    decreases len,
{
    if len == 0 {
        Seq::empty()
    } else {
        big_endian(v / 256, (len - 1) as nat).push((v % 256) as u8)
    }
}

fn big_endian_bytes(v: u128, len: usize) -> (bytes: Vec<u8>)
    ensures
        bytes@ == big_endian(v as nat, len as nat),
    decreases len,
{
    if len == 0 {
        Vec::new()
    } else {
        let mut bytes = big_endian_bytes(v / 256, len - 1);
        bytes.push((v % 256) as u8);
        bytes
    }
}

/// The bytes under which the account `v` is stored.
pub fn into_argument_uuid(v: u128) -> (bytes: Vec<u8>)
    ensures
        bytes@ == spec_into_argument_uuid(v),
{
    big_endian_bytes(v, 16)
}

/// Whether `v` has at most `len` base-256 digits.
pub open spec fn fits_digits(v: nat, len: nat) -> bool
    decreases len,
{
    if len == 0 {
        v == 0
    } else {
        fits_digits(v / 256, (len - 1) as nat)
    }
}

proof fn lemma_big_endian_tells_apart(a: nat, b: nat, len: nat)
    requires
        fits_digits(a, len),
        fits_digits(b, len),
        big_endian(a, len) == big_endian(b, len),
    ensures
        a == b,
    decreases len,
{
    if len > 0 {
        let shorter = (len - 1) as nat;
        let left = big_endian(a / 256, shorter).push((a % 256) as u8);
        let right = big_endian(b / 256, shorter).push((b % 256) as u8);
        assert(left.last() == right.last());
        assert(left.drop_last() =~= big_endian(a / 256, shorter));
        assert(right.drop_last() =~= big_endian(b / 256, shorter));
        lemma_big_endian_tells_apart(a / 256, b / 256, shorter);
    }
}

/// Two accounts are stored under the same bytes only if they are the same
/// account.
pub proof fn lemma_accounts_are_stored_apart(a: u128, b: u128)
    requires
        spec_into_argument_uuid(a) == spec_into_argument_uuid(b),
    ensures
        a == b,
{
    reveal_with_fuel(fits_digits, 17);
    lemma_big_endian_tells_apart(a as nat, b as nat, 16);
}

/// Whether an answer checked at `last_checked` may still be served at `now`.
///
/// A clock that reads earlier than the last check never counts as fresh.
/// Otherwise the answer is fresh while less time has passed than the window
/// chosen by the outcome of the last check.
pub open spec fn is_fresh(
    now: Timestamp,
    last_checked: Timestamp,
    last_check_changed: bool,
    unchanged_ttl: TimeSpan,
    changed_ttl: TimeSpan,
) -> bool {
    match now.spec_duration_since(last_checked) {
        Some(elapsed) => if last_check_changed {
            elapsed.millis < changed_ttl.millis
        } else {
            elapsed.millis < unchanged_ttl.millis
        },
        None => false,
    }
}

/// One entry of an account's name history.
#[derive(Debug)]
pub struct NameHistoryElement {
    /// The name the account took.
    pub name: String,
    /// When the name became current. `None` marks the first known name,
    /// which was on record before any change was observed.
    pub changed_to_at: Option<Timestamp>,
}

/// A `NameHistoryElement` with its name as a sequence of characters.
pub struct NameHistoryElementView {
    pub name: Seq<char>,
    pub changed_to_at: Option<Timestamp>,
}

impl View for NameHistoryElement {
    type V = NameHistoryElementView;

    open spec fn view(&self) -> NameHistoryElementView {
        NameHistoryElementView { name: self.name@, changed_to_at: self.changed_to_at }
    }
}

/// An account's names in the order in which they were recorded.
pub type NameHistory = Vec<NameHistoryElement>;

/// The entries of a history, each by its view.
pub open spec fn history_view(history: Seq<NameHistoryElement>) -> Seq<NameHistoryElementView> {
    history.map_values(|e: NameHistoryElement| e@)
}

impl NameHistoryElementView {
    /// Where the entry stands in time: its time of change in milliseconds,
    /// and before every such time where it has none.
    pub open spec fn rank(self) -> int {
        match self.changed_to_at {
            Some(t) => t.millis as int,
            None => -1,
        }
    }
}

/// Whether a history is in order: ascending by time of change with an
/// entry without one first, no two neighbours with the same name, and at
/// most one entry without a time of change.
pub open spec fn history_is_ordered(history: Seq<NameHistoryElementView>) -> bool {
    &&& forall|i: int, j: int|
        0 <= i <= j < history.len() ==> (#[trigger] history[i]).rank() <= (
        #[trigger] history[j]).rank()
    &&& forall|i: int, j: int|
        0 <= i < history.len() && j == i + 1 && j < history.len() ==> (
        #[trigger] history[i]).name != (#[trigger] history[j]).name
    &&& forall|i: int, j: int|
        0 <= i < j < history.len() ==> !((#[trigger] history[i]).changed_to_at.is_none() && (
        #[trigger] history[j]).changed_to_at.is_none())
}

/// What stands before the name in a serialized entry.
pub const ENTRY_HEAD: &'static str = "{\"name\":";

/// What stands between the name and the time of change in a serialized
/// entry that has one.
pub const ENTRY_CHANGED_TO_AT: &'static str = ",\"changedToAt\":";

/// What stands at the end of a serialized entry.
pub const ENTRY_TAIL: &'static str = "}";

/// The JSON object of an entry whose name is written as `name`: the name,
/// and, only where the entry has one, the time of change.
pub open spec fn spec_entry_json(name: Seq<char>, changed_to_at: Option<u128>) -> Seq<char> {
    ENTRY_HEAD@ + name + match changed_to_at {
        Some(millis) => ENTRY_CHANGED_TO_AT@ + decimal(millis as nat),
        None => Seq::empty(),
    } + ENTRY_TAIL@
}

/// Writes the JSON object of an entry. `name` is the entry's name as it
/// stands in a JSON document, `changed_to_at` its time of change in
/// milliseconds since the epoch.
pub fn entry_json(name: &str, changed_to_at: Option<u128>) -> (json: String)
    ensures
        json@ == spec_entry_json(name@, changed_to_at),
{
    let mut json = String::from_str(ENTRY_HEAD);
    json.append(name);
    if let Some(millis) = changed_to_at {
        json.append(ENTRY_CHANGED_TO_AT);
        let digits = to_decimal(millis);
        json.append(digits.as_str());
    }
    json.append(ENTRY_TAIL);
    json
}

impl NameHistoryElementView {
    /// The time of change in milliseconds since the epoch.
    pub open spec fn changed_to_at_millis(self) -> Option<u128> {
        match self.changed_to_at {
            Some(t) => Some(t.millis),
            None => None,
        }
    }

    /// The entry as a JSON object: the name, and, only where the entry has
    /// one, the time of change in milliseconds since the epoch.
    pub open spec fn serialize(self) -> Seq<char> {
        spec_entry_json(json_string(self.name), self.changed_to_at_millis())
    }
}

impl NameHistoryElement {
    /// The entry as a JSON object.
    pub fn serialize(&self) -> (json: String)
        ensures
            json@ == self@.serialize(),
    {
        let name = to_json_string(self.name.as_str());
        let changed_to_at = match &self.changed_to_at {
            Some(t) => Some(t.as_millis()),
            None => None,
        };
        entry_json(name.as_str(), changed_to_at)
    }

    /// The first known name of an account, with no time of change.
    pub fn new_initial(name: String) -> (element: Self)
        ensures
            element@ == (NameHistoryElementView { name: name@, changed_to_at: None }),
    {
        Self { name, changed_to_at: None }
    }

    /// A name that became current at `changed_to_at`.
    pub fn new(name: String, changed_to_at: Timestamp) -> (element: Self)
        ensures
            element@ == (NameHistoryElementView {
                name: name@,
                changed_to_at: Some(changed_to_at),
            }),
    {
        Self { name, changed_to_at: Some(changed_to_at) }
    }

    /// The count under which a time of change is stored: its milliseconds
    /// since the epoch, where a column can hold them.
    pub open spec fn spec_into_argument_systemtime(v: Timestamp) -> Option<i64> {
        if v.millis <= COLUMN_MAX {
            Some(v.millis as i64)
        } else {
            None
        }
    }

    /// The time of change that a stored count stands for: that many
    /// milliseconds since the epoch. A negative count stands for none.
    pub open spec fn spec_from_argument(raw: i64) -> Option<Timestamp> {
        if raw >= 0 {
            Some(Timestamp { millis: raw as u128 })
        } else {
            None
        }
    }

    /// The count under which the time of change `v` is stored. A time too
    /// late for a column to hold is refused, with its milliseconds.
    pub fn into_argument_systemtime(v: &Timestamp) -> (raw: Result<
        i64,
        SystemTimeTransformationError<u128>,
    >)
        ensures
            match raw {
                Ok(raw) => Self::spec_into_argument_systemtime(*v) == Some(raw),
                Err(e) => Self::spec_into_argument_systemtime(*v).is_none() && e.0 == v.millis,
            },
    {
        if v.millis <= COLUMN_MAX {
            Ok(v.millis as i64)
        } else {
            Err(SystemTimeTransformationError(v.millis))
        }
    }

    /// The entry that a stored row stands for. `changed_to_at` is the value
    /// of the column of that name, `None` where the row has none. A count
    /// that stands for no time is refused, with the column's name.
    pub fn from_row(name: String, changed_to_at: Option<i64>) -> (element: Result<
        Self,
        ColumnDecode,
    >)
        ensures
            match changed_to_at {
                None => element matches Ok(e) && e@ == (NameHistoryElementView {
                    name: name@,
                    changed_to_at: None,
                }),
                Some(raw) => match Self::spec_from_argument(raw) {
                    Some(t) => element matches Ok(e) && e@ == (NameHistoryElementView {
                        name: name@,
                        changed_to_at: Some(t),
                    }),
                    None => element matches Err(e) && e@ == (ColumnDecodeView {
                        index: COLUMN_CHANGED_TO_AT@,
                        raw,
                    }),
                },
            },
    {
        match changed_to_at {
            Some(raw) => {
                if raw >= 0 {
                    Ok(
                        NameHistoryElement {
                            name,
                            changed_to_at: Some(Timestamp { millis: raw as u128 }),
                        },
                    )
                } else {
                    Err(systemtime_error(COLUMN_CHANGED_TO_AT, raw))
                }
            },
            None => Ok(NameHistoryElement { name, changed_to_at: None }),
        }
    }
}

/// A failure reported by the store, with the store's own message.
#[derive(Debug)]
pub struct DatabaseError {
    pub message: String,
}

impl View for DatabaseError {
    type V = Seq<char>;

    open spec fn view(&self) -> Seq<char> {
        self.message@
    }
}

/// When an account was last checked against its profile, and what the check
/// found.
#[derive(Debug, Clone, Copy, PartialEq, Eq, Structural)]
pub struct Update {
    /// Time of the last check.
    pub update: Timestamp,
    /// Whether that check found a name not yet on record.
    pub changed: bool,
}

impl Update {
    pub fn new(update: Timestamp, changed: bool) -> (record: Self)
        ensures
            record.update == update,
            record.changed == changed,
    {
        Self { update, changed }
    }

    /// The count under which the time of a check is stored: its whole
    /// seconds since the epoch, where a column can hold them.
    pub open spec fn spec_into_argument_systemtime(v: Timestamp) -> Option<i64> {
        if v.millis / 1000 <= COLUMN_MAX {
            Some((v.millis / 1000) as i64)
        } else {
            None
        }
    }

    /// The time of a check that a stored count stands for: that many
    /// seconds since the epoch. A negative count stands for none.
    pub open spec fn spec_from_argument(raw: i64) -> Option<Timestamp> {
        if raw >= 0 {
            Some(Timestamp { millis: (raw * 1000) as u128 })
        } else {
            None
        }
    }

    /// The count under which the time of a check is stored. A time too
    /// late for a column to hold is refused, with its milliseconds.
    pub fn into_argument_systemtime(v: &Timestamp) -> (raw: Result<
        i64,
        SystemTimeTransformationError<u128>,
    >)
        ensures
            match raw {
                Ok(raw) => Self::spec_into_argument_systemtime(*v) == Some(raw),
                Err(e) => Self::spec_into_argument_systemtime(*v).is_none() && e.0 == v.millis,
            },
    {
        let secs: u128 = v.millis / 1000;
        if secs <= COLUMN_MAX {
            Ok(secs as i64)
        } else {
            Err(SystemTimeTransformationError(v.millis))
        }
    }

    /// The record that a stored row stands for. `update` and `changed` are
    /// the values of the columns of those names. A count that stands for no
    /// time is refused, with the column's name.
    pub fn from_row(update: i64, changed: bool) -> (record: Result<Self, ColumnDecode>)
        ensures
            match Self::spec_from_argument(update) {
                Some(t) => record == Ok::<_, ColumnDecode>(Update { update: t, changed }),
                None => record matches Err(e) && e@ == (ColumnDecodeView {
                    index: COLUMN_UPDATE@,
                    raw: update,
                }),
            },
    {
        if update >= 0 {
            Ok(Update { update: Timestamp { millis: update as u128 * 1000 }, changed })
        } else {
            Err(systemtime_error(COLUMN_UPDATE, update))
        }
    }

    /// Whether the stored history may be served at `now` without asking the
    /// profile again.
    pub fn use_cache(&self, now: &Timestamp, config: &UseCacheConfig) -> (fresh: bool)
        ensures
            fresh == is_fresh(*now, self.update, self.changed, config.unchanged, config.changed),
    {
        match now.duration_since(&self.update) {
            Some(d) => {
                if self.changed {
                    d.millis < config.changed.millis
                } else {
                    d.millis < config.unchanged.millis
                }
            },
            None => false,
        }
    }
}

/// A time of change that a column can hold is read back as it was written.
pub proof fn lemma_changed_to_at_round_trips(v: Timestamp)
    requires
        NameHistoryElement::spec_into_argument_systemtime(v).is_some(),
    ensures
        NameHistoryElement::spec_from_argument(
            NameHistoryElement::spec_into_argument_systemtime(v).unwrap(),
        ) == Some(v),
{
}

/// Every count that stands for a time of change is the one under which
/// that time is stored.
pub proof fn lemma_changed_to_at_count_round_trips(raw: i64)
    requires
        NameHistoryElement::spec_from_argument(raw).is_some(),
    ensures
        NameHistoryElement::spec_into_argument_systemtime(
            NameHistoryElement::spec_from_argument(raw).unwrap(),
        ) == Some(raw),
{
}

/// The time of a check that a column can hold is read back cut to the whole
/// second.
pub proof fn lemma_update_round_trips_to_the_second(v: Timestamp)
    requires
        Update::spec_into_argument_systemtime(v).is_some(),
    ensures
        Update::spec_from_argument(Update::spec_into_argument_systemtime(v).unwrap()) == Some(
            Timestamp { millis: (v.millis - v.millis % 1000) as u128 },
        ),
{
}

/// Freshness is a window: an answer is fresh exactly from the moment of the
/// check until the chosen window has passed, and never before the check.
pub proof fn lemma_fresh_window(
    now: Timestamp,
    last_checked: Timestamp,
    last_check_changed: bool,
    unchanged_ttl: TimeSpan,
    changed_ttl: TimeSpan,
)
    ensures
        ({
            let ttl = if last_check_changed { changed_ttl } else { unchanged_ttl };
            is_fresh(now, last_checked, last_check_changed, unchanged_ttl, changed_ttl) <==> (
            last_checked.millis <= now.millis < last_checked.millis + ttl.millis)
        }),
{
}

/// Once the window has passed the answer stays stale: no later reading of
/// the clock makes it fresh again.
pub proof fn lemma_stale_stays_stale(
    now: Timestamp,
    later: Timestamp,
    last_checked: Timestamp,
    last_check_changed: bool,
    unchanged_ttl: TimeSpan,
    changed_ttl: TimeSpan,
)
    requires
        last_checked.millis <= now.millis <= later.millis,
        !is_fresh(now, last_checked, last_check_changed, unchanged_ttl, changed_ttl),
    ensures
        !is_fresh(later, last_checked, last_check_changed, unchanged_ttl, changed_ttl),
{
}

} // verus!
