//! The lookup of one account's name history, as a machine that asks for one
//! piece of outside work at a time.
//!
//! A lookup reads the record of the last check, decides whether the stored
//! history is still fresh, reads the history, and, where the history is
//! stale, asks for the current name, records it if it is new, and notes the
//! check. The caller performs each request and hands back what came of it.

use crate::client::config::UseCacheConfig;
use crate::client::JsonRequesterError;
use crate::client::JsonRequesterErrorView;
use crate::storage::data::history_view;
use crate::storage::data::is_fresh;
use crate::storage::data::DatabaseError;
use crate::storage::data::NameHistory;
use crate::storage::data::NameHistoryElement;
use crate::storage::data::NameHistoryElementView;
use crate::storage::data::Update;
use crate::utils::decimal::decimal;
use crate::utils::decimal::to_decimal;
use crate::utils::json::array;
use crate::utils::json::json_string;
use crate::utils::json::spec_array;
use crate::utils::json::texts;
use crate::utils::json::to_json_string;
use crate::utils::time::Timestamp;
use vstd::prelude::*;
use vstd::string::StringExecFns;

verus! {

/// Provenance tag of a name that was learned from the account's profile.
pub const UPDATE_BY_PROFILE: u32 = 1;

/// Status of a reply when the profile service turned the request down.
pub const SERVICE_UNAVAILABLE: u16 = 503;

/// Status of a reply when the lookup failed on this side.
pub const INTERNAL_SERVER_ERROR: u16 = 500;

/// The failure that a reply reports, by its origin.
#[derive(Debug)]
pub enum ErrorWrapper {
    /// The profile could not be had.
    Request(JsonRequesterError),
    /// The store failed.
    Database(DatabaseError),
}

/// An `ErrorWrapper` with its messages as sequences of characters.
pub enum ErrorWrapperView {
    Request(JsonRequesterErrorView),
    Database(Seq<char>),
}

impl View for ErrorWrapper {
    type V = ErrorWrapperView;

    open spec fn view(&self) -> ErrorWrapperView {
        match self {
            ErrorWrapper::Request(e) => ErrorWrapperView::Request(e@),
            ErrorWrapper::Database(e) => ErrorWrapperView::Database(e@),
        }
    }
}

impl ErrorWrapperView {
    /// The value of the `type` field of the reply's body.
    pub open spec fn type_tag(self) -> Seq<char> {
        match self {
            ErrorWrapperView::Request(JsonRequesterErrorView::Deserialize(_)) => "inner"@,
            ErrorWrapperView::Request(_) => "request"@,
            ErrorWrapperView::Database(_) => "database"@,
        }
    }

    /// The value of the `error` field of the reply's body, where it has one.
    pub open spec fn error(self) -> Option<Seq<char>> {
        match self {
            ErrorWrapperView::Request(JsonRequesterErrorView::Deserialize(e)) => Some(e),
            ErrorWrapperView::Request(JsonRequesterErrorView::Hyper(e)) => Some(e),
            ErrorWrapperView::Request(JsonRequesterErrorView::StatusCode(_)) => None,
            ErrorWrapperView::Database(e) => Some(e),
        }
    }

    /// The value of the `code` field of the reply's body, where it has one.
    pub open spec fn code(self) -> Option<u16> {
        match self {
            ErrorWrapperView::Request(JsonRequesterErrorView::StatusCode(c)) => Some(c),
            _ => None,
        }
    }

    /// The status under which the failure is reported: a refusal by the
    /// profile service is a service that is unavailable, everything else a
    /// failure on this side.
    pub open spec fn status(self) -> u16 {
        match self {
            ErrorWrapperView::Request(JsonRequesterErrorView::StatusCode(_)) => SERVICE_UNAVAILABLE,
            _ => INTERNAL_SERVER_ERROR,
        }
    }
}

impl ErrorWrapper {
    /// The value of the `type` field of the reply's body.
    pub fn type_tag(&self) -> (tag: &'static str)
        ensures
            tag@ == self@.type_tag(),
    {
        match self {
            ErrorWrapper::Request(JsonRequesterError::Deserialize(_)) => "inner",
            ErrorWrapper::Request(_) => "request",
            ErrorWrapper::Database(_) => "database",
        }
    }

    /// The value of the `error` field of the reply's body, where it has one.
    pub fn error(&self) -> (message: Option<&String>)
        ensures
            match message {
                Some(m) => self@.error() == Some(m@),
                None => self@.error().is_none(),
            },
    {
        match self {
            ErrorWrapper::Request(JsonRequesterError::Deserialize(e)) => Some(e),
            ErrorWrapper::Request(JsonRequesterError::Hyper(e)) => Some(e),
            ErrorWrapper::Request(JsonRequesterError::StatusCode(_)) => None,
            ErrorWrapper::Database(e) => Some(&e.message),
        }
    }

    /// The value of the `code` field of the reply's body, where it has one.
    pub fn code(&self) -> (code: Option<u16>)
        ensures
            code == self@.code(),
    {
        match self {
            ErrorWrapper::Request(JsonRequesterError::StatusCode(c)) => Some(*c),
            _ => None,
        }
    }
}

/// What stands before the kind of failure in a serialized failure.
pub const FAILURE_HEAD: &'static str = "{\"type\":";

/// What stands before the message in a serialized failure that has one.
pub const FAILURE_ERROR: &'static str = ",\"error\":";

/// What stands before the status code in a serialized failure that has one.
pub const FAILURE_CODE: &'static str = ",\"code\":";

/// What stands at the end of a serialized failure.
pub const FAILURE_TAIL: &'static str = "}";

/// The JSON object of a failure whose kind is written as `kind` and whose
/// message, if it has one, as `error`: the kind, then the message, then the
/// status code, the last two only where the failure has them.
pub open spec fn spec_failure_json(
    kind: Seq<char>,
    error: Option<Seq<char>>,
    code: Option<u16>,
) -> Seq<char> {
    FAILURE_HEAD@ + kind + match error {
        Some(e) => FAILURE_ERROR@ + e,
        None => Seq::empty(),
    } + match code {
        Some(c) => FAILURE_CODE@ + decimal(c as nat),
        None => Seq::empty(),
    } + FAILURE_TAIL@
}

/// Writes the JSON object of a failure. `kind` and `error` are the kind
/// and the message of the failure as they stand in a JSON document.
pub fn failure_json(kind: &str, error: Option<&str>, code: Option<u16>) -> (json: String)
    ensures
        json@ == spec_failure_json(
            kind@,
            match error {
                Some(e) => Some(e@),
                None => None,
            },
            code,
        ),
{
    let mut json = String::from_str(FAILURE_HEAD);
    json.append(kind);
    if let Some(e) = error {
        json.append(FAILURE_ERROR);
        json.append(e);
    }
    if let Some(c) = code {
        json.append(FAILURE_CODE);
        let digits = to_decimal(c as u128);
        json.append(digits.as_str());
    }
    json.append(FAILURE_TAIL);
    json
}

impl ErrorWrapperView {
    /// The failure as a JSON object: its kind, and then either its message
    /// or the status code of the profile service.
    pub open spec fn serialize(self) -> Seq<char> {
        spec_failure_json(
            json_string(self.type_tag()),
            match self.error() {
                Some(e) => Some(json_string(e)),
                None => None,
            },
            self.code(),
        )
    }
}

impl ErrorWrapper {
    /// The failure as a JSON object.
    pub fn serialize(&self) -> (json: String)
        ensures
            json@ == self@.serialize(),
    {
        let kind = to_json_string(self.type_tag());
        match self.error() {
            Some(e) => {
                let message = to_json_string(e.as_str());
                failure_json(kind.as_str(), Some(message.as_str()), self.code())
            },
            None => failure_json(kind.as_str(), None, self.code()),
        }
    }
}

/// A history as a JSON array of its entries, in their order.
pub open spec fn spec_serialize_history(data: Seq<NameHistoryElementView>) -> Seq<char> {
    spec_array(data.map_values(|e: NameHistoryElementView| e.serialize()))
}

/// A history as a JSON array of its entries, in their order.
pub fn serialize_history(data: &NameHistory) -> (json: String)
    ensures
        json@ == spec_serialize_history(history_view(data@)),
{
    let mut entries: Vec<String> = Vec::new();
    let mut i: usize = 0;
    while i < data.len()
        invariant
            i <= data.len(),
            texts(entries@) == history_view(data@).subrange(0, i as int).map_values(
                |e: NameHistoryElementView| e.serialize(),
            ),
        decreases data.len() - i,
    {
        let ghost before = texts(entries@);
        entries.push(data[i].serialize());
        assert(texts(entries@) =~= before.push(history_view(data@)[i as int].serialize()));
        assert(history_view(data@).subrange(0, i + 1) =~= history_view(data@).subrange(
            0,
            i as int,
        ).push(history_view(data@)[i as int]));
        i = i + 1;
    }
    assert(history_view(data@).subrange(0, i as int) =~= history_view(data@));
    array(&entries)
}

/// A reply that reports a failure: the status and what the body holds.
#[derive(Debug)]
pub struct ErrorResponse {
    pub status: u16,
    pub body: ErrorWrapper,
}

/// An `ErrorResponse` with its body by its view.
pub struct ErrorResponseView {
    pub status: u16,
    pub body: ErrorWrapperView,
}

impl View for ErrorResponse {
    type V = ErrorResponseView;

    open spec fn view(&self) -> ErrorResponseView {
        ErrorResponseView { status: self.status, body: self.body@ }
    }
}

/// The reply to a failure of the store.
pub open spec fn spec_into_error_response_db(e: Seq<char>) -> ErrorResponseView {
    ErrorResponseView { status: INTERNAL_SERVER_ERROR, body: ErrorWrapperView::Database(e) }
}

/// The reply to a failure of the profile lookup.
pub open spec fn spec_into_error_response_req(e: JsonRequesterErrorView) -> ErrorResponseView {
    ErrorResponseView {
        status: ErrorWrapperView::Request(e).status(),
        body: ErrorWrapperView::Request(e),
    }
}

/// The reply to a failure of the store: a failure on this side, with the
/// store's message in the body.
pub fn into_error_response_db(e: DatabaseError) -> (response: ErrorResponse)
    ensures
        response@ == spec_into_error_response_db(e@),
{
    ErrorResponse { status: INTERNAL_SERVER_ERROR, body: ErrorWrapper::Database(e) }
}

/// The reply to a failure of the profile lookup: a refusal by the profile
/// service is reported as a service that is unavailable, a failed transport
/// or an unreadable answer as a failure on this side.
pub fn into_error_response_req(e: JsonRequesterError) -> (response: ErrorResponse)
    ensures
        response@ == spec_into_error_response_req(e@),
{
    let status = match &e {
        JsonRequesterError::StatusCode(_) => SERVICE_UNAVAILABLE,
        JsonRequesterError::Hyper(_) => INTERNAL_SERVER_ERROR,
        JsonRequesterError::Deserialize(_) => INTERNAL_SERVER_ERROR,
    };
    ErrorResponse { status, body: ErrorWrapper::Request(e) }
}

/// What a lookup asks its surroundings to do next.
#[derive(Debug)]
pub enum Action {
    /// Read the record of the account's last check.
    GetUpdate,
    /// Read the account's stored history.
    GetNameHistory,
    /// Ask the profile service for the account's current name.
    RequestProfile,
    /// Append `element` to the account's stored history, tagged `source`.
    AddNameHistory { element: NameHistoryElement, source: u32 },
    /// Store `record` as the account's first record of a check.
    InsertUpdate { record: Update },
    /// Overwrite the account's record of the last check with `record`.
    RefreshUpdate { record: Update },
    /// Answer the caller; the lookup is over.
    Reply(Result<NameHistory, ErrorResponse>),
}

/// What the surroundings report back to a lookup.
#[derive(Debug)]
pub enum Event {
    /// The record of the last check, `None` where the account has none.
    Update(Result<Option<Update>, DatabaseError>),
    /// The stored history, empty where the account is unknown.
    NameHistory(Result<NameHistory, DatabaseError>),
    /// The current name according to the account's profile.
    Profile(Result<String, JsonRequesterError>),
    /// The number of rows that a write to the store affected.
    Written(Result<u64, DatabaseError>),
}

/// How far a lookup has come.
#[derive(Debug)]
pub enum Stage {
    /// The record of the last check was asked for.
    AwaitUpdate,
    /// The stored history was asked for.
    AwaitNameHistory { no_update_record: bool, need_request: bool },
    /// The profile was asked for; `data` is the stored history.
    AwaitProfile { no_update_record: bool, data: NameHistory },
    /// A new name is being appended; `data` already ends with it.
    AwaitAddNameHistory { no_update_record: bool, data: NameHistory },
    /// The record of this check is being written.
    AwaitUpdateWritten { data: NameHistory },
    /// The caller was answered.
    Finished,
}

/// An `Action` by its view.
pub enum ActionView {
    GetUpdate,
    GetNameHistory,
    RequestProfile,
    AddNameHistory { element: NameHistoryElementView, source: u32 },
    InsertUpdate { record: Update },
    RefreshUpdate { record: Update },
    Reply(Result<Seq<NameHistoryElementView>, ErrorResponseView>),
}

/// An `Event` by its view.
pub enum EventView {
    Update(Result<Option<Update>, Seq<char>>),
    NameHistory(Result<Seq<NameHistoryElementView>, Seq<char>>),
    Profile(Result<Seq<char>, JsonRequesterErrorView>),
    Written(Result<u64, Seq<char>>),
}

/// A `Stage` by its view.
pub enum StageView {
    AwaitUpdate,
    AwaitNameHistory { no_update_record: bool, need_request: bool },
    AwaitProfile { no_update_record: bool, data: Seq<NameHistoryElementView> },
    AwaitAddNameHistory { no_update_record: bool, data: Seq<NameHistoryElementView> },
    AwaitUpdateWritten { data: Seq<NameHistoryElementView> },
    Finished,
}

impl View for Action {
    type V = ActionView;

    open spec fn view(&self) -> ActionView {
        match self {
            Action::GetUpdate => ActionView::GetUpdate,
            Action::GetNameHistory => ActionView::GetNameHistory,
            Action::RequestProfile => ActionView::RequestProfile,
            Action::AddNameHistory { element, source } => ActionView::AddNameHistory {
                element: element@,
                source: *source,
            },
            Action::InsertUpdate { record } => ActionView::InsertUpdate { record: *record },
            Action::RefreshUpdate { record } => ActionView::RefreshUpdate { record: *record },
            Action::Reply(Ok(data)) => ActionView::Reply(Ok(history_view(data@))),
            Action::Reply(Err(e)) => ActionView::Reply(Err(e@)),
        }
    }
}

impl View for Event {
    type V = EventView;

    open spec fn view(&self) -> EventView {
        match self {
            Event::Update(Ok(update)) => EventView::Update(Ok(*update)),
            Event::Update(Err(e)) => EventView::Update(Err(e@)),
            Event::NameHistory(Ok(data)) => EventView::NameHistory(Ok(history_view(data@))),
            Event::NameHistory(Err(e)) => EventView::NameHistory(Err(e@)),
            Event::Profile(Ok(name)) => EventView::Profile(Ok(name@)),
            Event::Profile(Err(e)) => EventView::Profile(Err(e@)),
            Event::Written(Ok(rows)) => EventView::Written(Ok(*rows)),
            Event::Written(Err(e)) => EventView::Written(Err(e@)),
        }
    }
}

impl View for Stage {
    type V = StageView;

    open spec fn view(&self) -> StageView {
        match self {
            Stage::AwaitUpdate => StageView::AwaitUpdate,
            Stage::AwaitNameHistory { no_update_record, need_request } => {
                StageView::AwaitNameHistory {
                    no_update_record: *no_update_record,
                    need_request: *need_request,
                }
            },
            Stage::AwaitProfile { no_update_record, data } => StageView::AwaitProfile {
                no_update_record: *no_update_record,
                data: history_view(data@),
            },
            Stage::AwaitAddNameHistory { no_update_record, data } => {
                StageView::AwaitAddNameHistory {
                    no_update_record: *no_update_record,
                    data: history_view(data@),
                }
            },
            Stage::AwaitUpdateWritten { data } => StageView::AwaitUpdateWritten {
                data: history_view(data@),
            },
            Stage::Finished => StageView::Finished,
        }
    }
}

impl StageView {
    /// Whether `event` is the report that this stage waits for.
    pub open spec fn accepts(self, event: EventView) -> bool {
        match self {
            StageView::AwaitUpdate => event is Update,
            StageView::AwaitNameHistory { .. } => event is NameHistory,
            StageView::AwaitProfile { .. } => event is Profile,
            StageView::AwaitAddNameHistory { .. } => event is Written,
            StageView::AwaitUpdateWritten { .. } => event is Written,
            StageView::Finished => false,
        }
    }
}

/// Whether the stored history has to be checked against the profile, given
/// the record of the last check: always where there is no record, else
/// exactly when the record is no longer fresh at `now`.
pub open spec fn spec_need_request(
    update: Option<Update>,
    now: Timestamp,
    config: UseCacheConfig,
) -> bool {
    match update {
        Some(u) => !is_fresh(now, u.update, u.changed, config.unchanged, config.changed),
        None => true,
    }
}

/// Whether `name` differs from the most recent name of `data`, so that it
/// has to be recorded. Only the last entry is looked at; an empty history
/// records every name.
pub open spec fn spec_name_is_new(data: Seq<NameHistoryElementView>, name: Seq<char>) -> bool {
    data.len() == 0 || data.last().name != name
}

/// The write that notes a check: the first record is inserted, a later one
/// overwrites what is there.
pub open spec fn spec_write_update(no_update_record: bool, record: Update) -> ActionView {
    if no_update_record {
        ActionView::InsertUpdate { record }
    } else {
        ActionView::RefreshUpdate { record }
    }
}

/// The next stage of a lookup made at `now`, and what it asks for, when the
/// stage `stage` receives `event`.
///
/// Any failure ends the lookup with the matching reply and asks for no
/// further work. Where the stage does not wait for `event`, the result is
/// left open.
pub open spec fn spec_advance(
    now: Timestamp,
    config: UseCacheConfig,
    stage: StageView,
    event: EventView,
) -> (StageView, ActionView) {
    match (stage, event) {
        (StageView::AwaitUpdate, EventView::Update(Ok(update))) => (
            StageView::AwaitNameHistory {
                no_update_record: update.is_none(),
                need_request: spec_need_request(update, now, config),
            },
            ActionView::GetNameHistory,
        ),
        (
            StageView::AwaitNameHistory { no_update_record, need_request },
            EventView::NameHistory(Ok(data)),
        ) => if need_request {
            (StageView::AwaitProfile { no_update_record, data }, ActionView::RequestProfile)
        } else {
            (StageView::Finished, ActionView::Reply(Ok(data)))
        },
        (StageView::AwaitProfile { no_update_record, data }, EventView::Profile(Ok(name))) => {
            if spec_name_is_new(data, name) {
                let element = NameHistoryElementView { name, changed_to_at: Some(now) };
                (
                    StageView::AwaitAddNameHistory { no_update_record, data: data.push(element) },
                    ActionView::AddNameHistory { element, source: UPDATE_BY_PROFILE },
                )
            } else {
                (
                    StageView::AwaitUpdateWritten { data },
                    spec_write_update(no_update_record, Update { update: now, changed: false }),
                )
            }
        },
        (StageView::AwaitProfile { .. }, EventView::Profile(Err(e))) => (
            StageView::Finished,
            ActionView::Reply(Err(spec_into_error_response_req(e))),
        ),
        (StageView::AwaitAddNameHistory { no_update_record, data }, EventView::Written(Ok(_))) => (
            StageView::AwaitUpdateWritten { data },
            spec_write_update(no_update_record, Update { update: now, changed: true }),
        ),
        (StageView::AwaitUpdateWritten { data }, EventView::Written(Ok(_))) => (
            StageView::Finished,
            ActionView::Reply(Ok(data)),
        ),
        (StageView::AwaitUpdate, EventView::Update(Err(e))) => (
            StageView::Finished,
            ActionView::Reply(Err(spec_into_error_response_db(e))),
        ),
        (StageView::AwaitNameHistory { .. }, EventView::NameHistory(Err(e))) => (
            StageView::Finished,
            ActionView::Reply(Err(spec_into_error_response_db(e))),
        ),
        (StageView::AwaitAddNameHistory { .. }, EventView::Written(Err(e))) => (
            StageView::Finished,
            ActionView::Reply(Err(spec_into_error_response_db(e))),
        ),
        (StageView::AwaitUpdateWritten { .. }, EventView::Written(Err(e))) => (
            StageView::Finished,
            ActionView::Reply(Err(spec_into_error_response_db(e))),
        ),
        _ => vstd::pervasive::arbitrary(),
    }
}

impl EventView {
    /// The failure of the store that the report holds, if it holds one.
    pub open spec fn database_error(self) -> Option<Seq<char>> {
        match self {
            EventView::Update(Err(e)) => Some(e),
            EventView::NameHistory(Err(e)) => Some(e),
            EventView::Written(Err(e)) => Some(e),
            _ => None,
        }
    }
}

/// A failure ends the lookup at whatever stage it stands: the reply is the
/// one that reports the failure, and nothing more is asked for. A failure
/// of the store is reported as such, a failure of the profile lookup by
/// its kind.
pub proof fn lemma_failure_ends_lookup(
    now: Timestamp,
    config: UseCacheConfig,
    stage: StageView,
    event: EventView,
)
    requires
        stage.accepts(event),
    ensures
        event.database_error() matches Some(e) ==> spec_advance(now, config, stage, event) == (
            StageView::Finished,
            ActionView::Reply(Err(spec_into_error_response_db(e))),
        ),
        event matches EventView::Profile(Err(e)) ==> spec_advance(now, config, stage, event) == (
            StageView::Finished,
            ActionView::Reply(Err(spec_into_error_response_req(e))),
        ),
{
}

/// One lookup of an account's name history.
#[derive(Debug)]
pub struct Lookup {
    /// The time at which the lookup was begun.
    pub now: Timestamp,
    /// The windows within which a stored history is served unchecked.
    pub config: UseCacheConfig,
    /// How far the lookup has come.
    pub stage: Stage,
}

/// Whether the stored history has to be checked against the profile.
pub fn need_request(update: &Option<Update>, now: &Timestamp, config: &UseCacheConfig) -> (need:
    bool)
    ensures
        need == spec_need_request(*update, *now, *config),
{
    match update {
        Some(u) => !u.use_cache(now, config),
        None => true,
    }
}

/// Whether `name` differs from the most recent name of `data`.
pub fn name_is_new(data: &NameHistory, name: &String) -> (is_new: bool)
    ensures
        is_new == spec_name_is_new(history_view(data@), name@),
{
    let n = data.len();
    if n == 0 {
        true
    } else {
        data[n - 1].name != *name
    }
}

/// The write that notes a check.
pub fn write_update(no_update_record: bool, record: Update) -> (action: Action)
    ensures
        action@ == spec_write_update(no_update_record, record),
{
    if no_update_record {
        Action::InsertUpdate { record }
    } else {
        Action::RefreshUpdate { record }
    }
}

impl Stage {
    /// Whether `event` is the report that this stage waits for.
    pub fn accepts(&self, event: &Event) -> (ok: bool)
        ensures
            ok == self@.accepts(event@),
    {
        match self {
            Stage::AwaitUpdate => matches!(event, Event::Update(_)),
            Stage::AwaitNameHistory { .. } => matches!(event, Event::NameHistory(_)),
            Stage::AwaitProfile { .. } => matches!(event, Event::Profile(_)),
            Stage::AwaitAddNameHistory { .. } => matches!(event, Event::Written(_)),
            Stage::AwaitUpdateWritten { .. } => matches!(event, Event::Written(_)),
            Stage::Finished => false,
        }
    }
}

impl Lookup {
    /// Begins a lookup at `now`. Its first request is for the record of the
    /// account's last check.
    pub fn begin(now: Timestamp, config: UseCacheConfig) -> (started: (Lookup, Action))
        ensures
            started.0.now == now,
            started.0.config == config,
            started.0.stage@ == StageView::AwaitUpdate,
            started.1@ == ActionView::GetUpdate,
    {
        (Lookup { now, config, stage: Stage::AwaitUpdate }, Action::GetUpdate)
    }

    /// Whether the caller has been answered.
    pub fn is_finished(&self) -> (done: bool)
        ensures
            done == (self.stage@ is Finished),
    {
        matches!(self.stage, Stage::Finished)
    }

    /// Takes the report of the work last asked for and says what to do
    /// next. The time and the windows of the lookup stay as they are.
    pub fn advance(self, event: Event) -> (next: (Lookup, Action))
        requires
            self.stage@.accepts(event@),
        ensures
            next.0.now == self.now,
            next.0.config == self.config,
            (next.0.stage@, next.1@) == spec_advance(self.now, self.config, self.stage@, event@),
    {
        let now = self.now;
        let config = self.config;
        let (stage, action) = match (self.stage, event) {
            (Stage::AwaitUpdate, Event::Update(Ok(update))) => {
                let need = need_request(&update, &now, &config);
                (
                    Stage::AwaitNameHistory {
                        no_update_record: update.is_none(),
                        need_request: need,
                    },
                    Action::GetNameHistory,
                )
            },
            (
                Stage::AwaitNameHistory { no_update_record, need_request },
                Event::NameHistory(Ok(data)),
            ) => {
                if need_request {
                    (Stage::AwaitProfile { no_update_record, data }, Action::RequestProfile)
                } else {
                    (Stage::Finished, Action::Reply(Ok(data)))
                }
            },
            (Stage::AwaitProfile { no_update_record, data }, Event::Profile(Ok(name))) => {
                if name_is_new(&data, &name) {
                    let mut data = data;
                    let ghost before = history_view(data@);
                    let element = NameHistoryElement::new(name.clone(), now);
                    data.push(NameHistoryElement::new(name, now));
                    assert(history_view(data@) =~= before.push(element@));
                    (
                        Stage::AwaitAddNameHistory { no_update_record, data },
                        Action::AddNameHistory { element, source: UPDATE_BY_PROFILE },
                    )
                } else {
                    (
                        Stage::AwaitUpdateWritten { data },
                        write_update(no_update_record, Update::new(now, false)),
                    )
                }
            },
            (Stage::AwaitProfile { .. }, Event::Profile(Err(e))) => (
                Stage::Finished,
                Action::Reply(Err(into_error_response_req(e))),
            ),
            (Stage::AwaitAddNameHistory { no_update_record, data }, Event::Written(Ok(_))) => (
                Stage::AwaitUpdateWritten { data },
                write_update(no_update_record, Update::new(now, true)),
            ),
            (Stage::AwaitUpdateWritten { data }, Event::Written(Ok(_))) => (
                Stage::Finished,
                Action::Reply(Ok(data)),
            ),
            (_, Event::Update(Err(e))) => (
                Stage::Finished,
                Action::Reply(Err(into_error_response_db(e))),
            ),
            (_, Event::NameHistory(Err(e))) => (
                Stage::Finished,
                Action::Reply(Err(into_error_response_db(e))),
            ),
            (_, Event::Written(Err(e))) => (
                Stage::Finished,
                Action::Reply(Err(into_error_response_db(e))),
            ),
            _ => vstd::pervasive::unreached(),
        };
        (Lookup { now, config, stage }, action)
    }
}

} // verus!
